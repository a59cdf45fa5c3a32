//! Bounded arbitration: evaluate one finite ledger query result once.
//!
//! The ledger state is an explicit argument — the entries a ledger query
//! over the relevant range returned, in log order — which makes bounded
//! arbitration a pure function of ledger state, filter, options, and
//! predicate.  An entry is judged when it matches the compiled query,
//! survives the idempotency guard, and its payload decodes; decode failures
//! exclude only that entry.

use vstd::prelude::*;

use crate::abi::{copy_bytes, decode_statement, statement_dec, statement_dec_ok};
use crate::attestation::{
    ledger_sorted, ledger_view, pos_le, py_att_of, Attestation, EntryV, LedgerEntry,
    PyOracleAttestation,
};
use crate::decision::{tri_state_of, DecisionArbiter, TriState};
use crate::filter::{
    compile_filter, compile_spec, opt_bytes_view, FilterError, LogQuery, QueryV,
};
use crate::hex::{hex_str_of, hex_string_of};
use crate::params::{PyArbitrateOptions, PyFulfillmentParams};
use crate::results::{count_accepted, decisions_view, DecisionV, PyArbitrationResult, PyDecision};

verus! {

/// Does an optional query field allow this value?
pub open spec fn field_matches(f: Option<Seq<u8>>, v: Seq<u8>) -> bool {
    f is None || f->0 == v
}

/// Does the entry's block number fall in the query's range?
pub open spec fn block_in_range(q: QueryV, e: EntryV) -> bool {
    (q.from_block is None || q.from_block->0 <= e.block_number) && (q.to_block is None
        || e.block_number <= q.to_block->0)
}

/// Does this entry match every constraint of the query?
pub open spec fn query_matches(q: QueryV, e: EntryV) -> bool {
    field_matches(q.attester, e.attestation.attester) && field_matches(
        q.recipient,
        e.attestation.recipient,
    ) && field_matches(q.schema_uid, e.attestation.schema) && field_matches(
        q.uid,
        e.attestation.uid,
    ) && field_matches(q.ref_uid, e.attestation.ref_uid) && block_in_range(q, e)
}

/// Is this entry judged by a bounded call: it matches the query, survives
/// the idempotency guard, and its statement payload decodes.
pub open spec fn eligible(e: EntryV, q: QueryV, opts: PyArbitrateOptions) -> bool {
    query_matches(q, e) && (!opts.skip_arbitrated || !e.arbitrated) && statement_dec_ok(
        e.attestation.data,
    )
}

/// The entries a bounded call judges, in ledger order.
pub open spec fn eligible_entries(l: Seq<EntryV>, q: QueryV, opts: PyArbitrateOptions) -> Seq<
    EntryV,
>
    decreases l.len(),
{
    if l.len() == 0 {
        Seq::empty()
    } else if eligible(l.last(), q, opts) {
        eligible_entries(l.drop_last(), q, opts).push(l.last())
    } else {
        eligible_entries(l.drop_last(), q, opts)
    }
}

/// The decision one eligible entry yields under a predicate.
pub open spec fn decide_entry<P: DecisionArbiter>(e: EntryV, p: P) -> DecisionV {
    DecisionV {
        attestation: py_att_of(e.attestation),
        decision: tri_state_of(p.reply_spec(statement_dec(e.attestation.data))),
        transaction_hash: hex_str_of(e.tx_hash),
        statement_data: Some(statement_dec(e.attestation.data)),
        demand_data: None,
    }
}

/// Everything a bounded call decides: the eligible entries, judged in
/// order.
pub open spec fn arb_decisions<P: DecisionArbiter>(
    l: Seq<EntryV>,
    q: QueryV,
    opts: PyArbitrateOptions,
    p: P,
) -> Seq<DecisionV> {
    eligible_entries(l, q, opts).map_values(|e: EntryV| decide_entry(e, p))
}

/// Taking one more ledger entry extends the eligible entries by that entry
/// exactly when it is eligible.
pub proof fn lemma_eligible_step(l: Seq<EntryV>, q: QueryV, opts: PyArbitrateOptions, i: int)
    requires
        0 <= i < l.len(),
    ensures
        eligible_entries(l.take(i + 1), q, opts) == if eligible(l[i], q, opts) {
            eligible_entries(l.take(i), q, opts).push(l[i])
        } else {
            eligible_entries(l.take(i), q, opts)
        },
{
    assert(l.take(i + 1).drop_last() =~= l.take(i));
    assert(l.take(i + 1).last() == l[i]);
}

/// Match one optional query field against a value.
fn opt_field_matches(f: &Option<Vec<u8>>, v: &Vec<u8>) -> (b: bool)
    ensures
        b == field_matches(opt_bytes_view(*f), v@),
{
    match f {
        None => true,
        Some(fv) => crate::abi::bytes_eq(fv, v),
    }
}

/// Does this entry match every constraint of the compiled query?
pub fn entry_matches(q: &LogQuery, e: &LedgerEntry) -> (b: bool)
    ensures
        b == query_matches(q@, e@),
{
    if !opt_field_matches(&q.attester, &e.attestation.attester) {
        return false;
    }
    if !opt_field_matches(&q.recipient, &e.attestation.recipient) {
        return false;
    }
    if !opt_field_matches(&q.schema_uid, &e.attestation.schema) {
        return false;
    }
    if !opt_field_matches(&q.uid, &e.attestation.uid) {
        return false;
    }
    if !opt_field_matches(&q.ref_uid, &e.attestation.ref_uid) {
        return false;
    }
    if let Some(from) = &q.from_block {
        if e.block_number < *from {
            return false;
        }
    }
    if let Some(to) = &q.to_block {
        if e.block_number > *to {
            return false;
        }
    }
    true
}

/// Judge every eligible entry of the ledger under a compiled query, in
/// order.
pub fn arbitrate_entries<P: DecisionArbiter>(
    ledger: &Vec<LedgerEntry>,
    query: &LogQuery,
    predicate: &P,
    options: &PyArbitrateOptions,
) -> (r: Vec<PyDecision>)
    ensures
        decisions_view(r@) == arb_decisions(ledger_view(ledger@), query@, *options, *predicate),
{
    let mut out: Vec<PyDecision> = Vec::new();
    let ghost lv = ledger_view(ledger@);
    let mut i: usize = 0;
    while i < ledger.len()
        invariant
            i <= ledger@.len(),
            lv == ledger_view(ledger@),
            lv.len() == ledger@.len(),
            decisions_view(out@) == arb_decisions(lv.take(i as int), query@, *options, *predicate),
        decreases ledger@.len() - i,
    {
        let e = &ledger[i];
        assert(lv[i as int] == e@);
        let mut decided = false;
        if entry_matches(query, e) && (!options.skip_arbitrated || !e.arbitrated) {
            match decode_statement(&e.attestation.data) {
                Some(stmt) => {
                    let reply = predicate.evaluate(&stmt);
                    let d = PyDecision {
                        attestation: PyOracleAttestation::from_attestation(&e.attestation),
                        decision: crate::decision::classify_reply(reply),
                        transaction_hash: hex_string_of(&e.tx_hash),
                        statement_data: Some(stmt),
                        demand_data: None,
                    };
                    assert(d@ == decide_entry(e@, *predicate));
                    out.push(d);
                    decided = true;
                },
                None => {},
            }
        }
        proof {
            lemma_eligible_step(lv, query@, *options, i as int);
            if decided {
                assert(eligible(lv[i as int], query@, *options));
                assert(decisions_view(out@) =~= arb_decisions(
                    lv.take(i as int),
                    query@,
                    *options,
                    *predicate,
                ).push(decide_entry(lv[i as int], *predicate)));
                assert(arb_decisions(lv.take(i + 1), query@, *options, *predicate)
                    =~= arb_decisions(lv.take(i as int), query@, *options, *predicate).push(
                    decide_entry(lv[i as int], *predicate),
                ));
            } else {
                assert(!eligible(lv[i as int], query@, *options));
                assert(arb_decisions(lv.take(i + 1), query@, *options, *predicate)
                    =~= arb_decisions(lv.take(i as int), query@, *options, *predicate));
            }
        }
        i = i + 1;
    }
    assert(lv.take(lv.len() as int) =~= lv);
    out
}

/// Count the accepted decisions.
pub fn count_successful(ds: &Vec<PyDecision>) -> (n: usize)
    ensures
        n == count_accepted(decisions_view(ds@)),
{
    let mut n: usize = 0;
    let mut i: usize = 0;
    while i < ds.len()
        invariant
            i <= ds@.len(),
            n <= i,
            n == count_accepted(decisions_view(ds@.take(i as int))),
        decreases ds@.len() - i,
    {
        let accepted = match ds[i].decision {
            TriState::Accepted => true,
            _ => false,
        };
        proof {
            assert(decisions_view(ds@.take(i + 1)).drop_last() =~= decisions_view(
                ds@.take(i as int),
            ));
            assert(decisions_view(ds@.take(i + 1)).last() == ds@[i as int]@);
        }
        if accepted {
            n = n + 1;
        }
        i = i + 1;
    }
    assert(ds@.take(ds@.len() as int) =~= ds@);
    n
}

/// Evaluate one finite query result once.
///
/// Compiles the fulfillment filter, judges every eligible ledger entry in
/// order, and returns the decisions with their counts.  Fails exactly when
/// the filter fails to compile, before anything is judged.
pub fn arbitrate_past<P: DecisionArbiter>(
    ledger: &Vec<LedgerEntry>,
    fulfillment: &PyFulfillmentParams,
    predicate: &P,
    options: &PyArbitrateOptions,
) -> (r: Result<PyArbitrationResult, FilterError>)
    ensures
        match r {
            Ok(res) => compile_spec(fulfillment.filter@) is Ok && decisions_view(res.decisions@)
                == arb_decisions(
                ledger_view(ledger@),
                compile_spec(fulfillment.filter@)->Ok_0,
                *options,
                *predicate,
            ) && res.total_count == res.decisions@.len() && res.successful_count == count_accepted(
                decisions_view(res.decisions@),
            ),
            Err(e) => compile_spec(fulfillment.filter@) == Err::<QueryV, FilterError>(e),
        },
{
    let query = compile_filter(&fulfillment.filter)?;
    let decisions = arbitrate_entries(ledger, &query, predicate, options);
    let successful_count = count_successful(&decisions);
    let total_count = decisions.len();
    Ok(PyArbitrationResult { decisions, successful_count, total_count })
}

/// Did some decision of this run judge the attestation with this rendered
/// identifier?
pub open spec fn uid_decided(ds: Seq<DecisionV>, uid_hex: Seq<char>) -> bool {
    exists|k: int| 0 <= k < ds.len() && (#[trigger] ds[k]).attestation.uid == uid_hex
}

/// The ledger with every decided attestation flagged as arbitrated.
pub open spec fn mark_spec(l: Seq<EntryV>, ds: Seq<DecisionV>) -> Seq<EntryV> {
    Seq::new(
        l.len(),
        |i: int| EntryV {
            arbitrated: l[i].arbitrated || uid_decided(ds, hex_str_of(l[i].attestation.uid)),
            ..l[i]
        },
    )
}

/// Copy a ledger entry.
fn clone_entry(e: &LedgerEntry) -> (r: LedgerEntry)
    ensures
        r@ == e@,
{
    LedgerEntry {
        attestation: Attestation {
            uid: copy_bytes(&e.attestation.uid),
            schema: copy_bytes(&e.attestation.schema),
            ref_uid: copy_bytes(&e.attestation.ref_uid),
            attester: copy_bytes(&e.attestation.attester),
            recipient: copy_bytes(&e.attestation.recipient),
            time: e.attestation.time,
            expiration_time: e.attestation.expiration_time,
            revocation_time: e.attestation.revocation_time,
            revocable: e.attestation.revocable,
            data: copy_bytes(&e.attestation.data),
        },
        block_number: e.block_number,
        log_index: e.log_index,
        tx_hash: copy_bytes(&e.tx_hash),
        arbitrated: e.arbitrated,
    }
}

/// Flag every ledger entry whose attestation one of these decisions judged,
/// mirroring the external idempotency tracking a caller or the ledger
/// itself performs after a run.
pub fn mark_arbitrated(ledger: &Vec<LedgerEntry>, decisions: &Vec<PyDecision>) -> (r: Vec<
    LedgerEntry,
>)
    ensures
        ledger_view(r@) == mark_spec(ledger_view(ledger@), decisions_view(decisions@)),
{
    let ghost lv = ledger_view(ledger@);
    let ghost dv = decisions_view(decisions@);
    let mut out: Vec<LedgerEntry> = Vec::new();
    let mut i: usize = 0;
    while i < ledger.len()
        invariant
            i <= ledger@.len(),
            lv == ledger_view(ledger@),
            dv == decisions_view(decisions@),
            lv.len() == ledger@.len(),
            ledger_view(out@) =~= mark_spec(lv, dv).take(i as int),
        decreases ledger@.len() - i,
    {
        let e = &ledger[i];
        let uid_hex = hex_string_of(&e.attestation.uid);
        let mut decided = false;
        let mut k: usize = 0;
        while k < decisions.len()
            invariant
                k <= decisions@.len(),
                dv == decisions_view(decisions@),
                dv.len() == decisions@.len(),
                uid_hex@ == hex_str_of(e.attestation.uid@),
                decided == exists|j: int|
                    0 <= j < k && (#[trigger] dv[j]).attestation.uid == uid_hex@,
            decreases decisions@.len() - k,
        {
            if decisions[k].attestation.uid == uid_hex {
                assert(dv[k as int].attestation.uid == uid_hex@);
                decided = true;
            }
            k = k + 1;
        }
        assert(decided == uid_decided(dv, hex_str_of(e.attestation.uid@)));
        let mut marked = clone_entry(e);
        if decided {
            marked.arbitrated = true;
        } else {
            marked.arbitrated = e.arbitrated;
        }
        assert(marked@ == mark_spec(lv, dv)[i as int]);
        let ghost prev_out = out@;
        out.push(marked);
        proof {
            assert(ledger_view(out@) =~= ledger_view(prev_out).push(mark_spec(lv, dv)[i as int]));
            assert(ledger_view(out@) =~= mark_spec(lv, dv).take(i + 1));
        }
        i = i + 1;
    }
    assert(mark_spec(lv, dv).take(lv.len() as int) =~= mark_spec(lv, dv));
    out
}

/// Every entry a bounded call judges is eligible.
pub proof fn lemma_eligible_all(l: Seq<EntryV>, q: QueryV, opts: PyArbitrateOptions)
    ensures
        forall|k: int|
            0 <= k < eligible_entries(l, q, opts).len() ==> eligible(
                #[trigger] eligible_entries(l, q, opts)[k],
                q,
                opts,
            ),
    decreases l.len(),
{
    if l.len() == 0 {
    } else {
        let l0 = l.drop_last();
        lemma_eligible_all(l0, q, opts);
        let el = eligible_entries(l, q, opts);
        let el0 = eligible_entries(l0, q, opts);
        assert forall|k: int| 0 <= k < el.len() implies eligible(#[trigger] el[k], q, opts) by {
            if eligible(l.last(), q, opts) {
                if k < el0.len() {
                    assert(el[k] == el0[k]);
                } else {
                    assert(el[k] == l.last());
                }
            } else {
                assert(el[k] == el0[k]);
            }
        }
    }
}

/// Every entry a bounded call judges comes from the ledger.
pub proof fn lemma_eligible_membership(l: Seq<EntryV>, q: QueryV, opts: PyArbitrateOptions)
    ensures
        forall|k: int|
            0 <= k < eligible_entries(l, q, opts).len() ==> exists|i: int|
                0 <= i < l.len() && #[trigger] eligible_entries(l, q, opts)[k] == #[trigger] l[i],
    decreases l.len(),
{
    if l.len() == 0 {
    } else {
        let l0 = l.drop_last();
        lemma_eligible_membership(l0, q, opts);
        let el = eligible_entries(l, q, opts);
        let el0 = eligible_entries(l0, q, opts);
        assert forall|k: int| 0 <= k < el.len() implies exists|i: int|
            0 <= i < l.len() && #[trigger] el[k] == #[trigger] l[i] by {
            if k < el0.len() {
                let i0 = choose|i0: int| 0 <= i0 < l0.len() && el0[k] == #[trigger] l0[i0];
                assert(el[k] == el0[k]);
                assert(el[k] == l[i0]);
            } else {
                assert(el[k] == l[l.len() - 1]);
            }
        }
    }
}

/// Decisions come in ledger log order: on a ledger sorted by block number
/// and log index, the entries a bounded call judges — whose judgements the
/// decisions are, in order — are sorted the same way.
pub proof fn lemma_decisions_in_ledger_order(l: Seq<EntryV>, q: QueryV, opts: PyArbitrateOptions)
    requires
        ledger_sorted(l),
    ensures
        ledger_sorted(eligible_entries(l, q, opts)),
    decreases l.len(),
{
    if l.len() == 0 {
    } else {
        let l0 = l.drop_last();
        assert(ledger_sorted(l0)) by {
            assert forall|i: int, j: int| 0 <= i <= j < l0.len() implies pos_le(
                (#[trigger] l0[i]).block_number,
                l0[i].log_index,
                (#[trigger] l0[j]).block_number,
                l0[j].log_index,
            ) by {
                assert(l0[i] == l[i]);
                assert(l0[j] == l[j]);
            }
        }
        lemma_decisions_in_ledger_order(l0, q, opts);
        lemma_eligible_membership(l0, q, opts);
        let el = eligible_entries(l, q, opts);
        let el0 = eligible_entries(l0, q, opts);
        if eligible(l.last(), q, opts) {
            assert forall|a: int, b: int| 0 <= a <= b < el.len() implies pos_le(
                (#[trigger] el[a]).block_number,
                el[a].log_index,
                (#[trigger] el[b]).block_number,
                el[b].log_index,
            ) by {
                if b < el0.len() {
                    assert(el[a] == el0[a]);
                    assert(el[b] == el0[b]);
                } else {
                    assert(el[b] == l[l.len() - 1]);
                    if a < el0.len() {
                        let i = choose|i: int| 0 <= i < l0.len() && el0[a] == #[trigger] l0[i];
                        assert(el[a] == l[i]);
                        assert(pos_le(
                            l[i].block_number,
                            l[i].log_index,
                            l[l.len() - 1].block_number,
                            l[l.len() - 1].log_index,
                        ));
                    }
                }
            }
        }
    }
}

/// Bounded arbitration is a pure function of (ledger state, query, options,
/// predicate) at call time: the decisions are fully determined by those
/// inputs, so two runs over an unchanged ledger and equal arguments yield
/// identical decision sequences.
pub proof fn lemma_arbitrate_deterministic<P: DecisionArbiter>(
    l1: Seq<EntryV>,
    l2: Seq<EntryV>,
    q: QueryV,
    opts: PyArbitrateOptions,
    p: P,
)
    requires
        l1 == l2,
    ensures
        arb_decisions(l1, q, opts, p) == arb_decisions(l2, q, opts, p),
{
}

/// Every decision of a bounded call is the judgement of some eligible
/// ledger entry.
pub proof fn lemma_arb_membership<P: DecisionArbiter>(
    l: Seq<EntryV>,
    q: QueryV,
    opts: PyArbitrateOptions,
    p: P,
)
    ensures
        forall|k: int|
            0 <= k < arb_decisions(l, q, opts, p).len() ==> exists|i: int|
                0 <= i < l.len() && eligible(#[trigger] l[i], q, opts) && #[trigger] arb_decisions(
                    l,
                    q,
                    opts,
                    p,
                )[k] == decide_entry(l[i], p),
{
    lemma_eligible_membership(l, q, opts);
    lemma_eligible_all(l, q, opts);
    let el = eligible_entries(l, q, opts);
    let ds = arb_decisions(l, q, opts, p);
    assert forall|k: int| 0 <= k < ds.len() implies exists|i: int|
        0 <= i < l.len() && eligible(#[trigger] l[i], q, opts) && #[trigger] ds[k] == decide_entry(
            l[i],
            p,
        ) by {
        assert(ds[k] == decide_entry(el[k], p));
        let i = choose|i: int| 0 <= i < l.len() && el[k] == #[trigger] l[i];
        assert(eligible(l[i], q, opts));
        assert(ds[k] == decide_entry(l[i], p));
    }
}

/// The idempotency guard: after the decided attestations of a first run
/// are flagged, a second run with `skip_arbitrated` set judges none of
/// them again — no decision of the second run names an attestation the
/// first run decided.  The second run's query, options, and predicate may
/// differ.
pub proof fn lemma_skip_arbitrated_excludes<PA: DecisionArbiter, PB: DecisionArbiter>(
    l: Seq<EntryV>,
    q1: QueryV,
    o1: PyArbitrateOptions,
    p1: PA,
    q2: QueryV,
    o2: PyArbitrateOptions,
    p2: PB,
)
    requires
        o2.skip_arbitrated,
    ensures
        ({
            let first = arb_decisions(l, q1, o1, p1);
            let second = arb_decisions(mark_spec(l, first), q2, o2, p2);
            forall|a: int, b: int|
                0 <= a < second.len() && 0 <= b < first.len() ==> (#[trigger] second[a]).attestation.uid
                    != (#[trigger] first[b]).attestation.uid
        }),
{
    let first = arb_decisions(l, q1, o1, p1);
    let l2 = mark_spec(l, first);
    let second = arb_decisions(l2, q2, o2, p2);
    lemma_arb_membership(l2, q2, o2, p2);
    assert forall|a: int, b: int|
        0 <= a < second.len() && 0 <= b < first.len() implies (#[trigger] second[a]).attestation.uid
        != (#[trigger] first[b]).attestation.uid by {
        let i = choose|i: int|
            0 <= i < l2.len() && eligible(#[trigger] l2[i], q2, o2) && second[a] == decide_entry(
                l2[i],
                p2,
            );
        assert(l2[i].attestation == l[i].attestation);
        assert(!l2[i].arbitrated);
        assert(!uid_decided(first, hex_str_of(l2[i].attestation.uid)));
        assert(second[a].attestation.uid == hex_str_of(l2[i].attestation.uid));
        if second[a].attestation.uid == first[b].attestation.uid {
            assert(0 <= b < first.len() && first[b].attestation.uid == hex_str_of(
                l2[i].attestation.uid,
            ));
            assert(uid_decided(first, hex_str_of(l2[i].attestation.uid)));
            assert(false);
        }
    }
}

/// One more ledger entry extends the eligible entries by that entry exactly
/// when it is eligible.
pub proof fn lemma_eligible_push(l: Seq<EntryV>, x: EntryV, q: QueryV, opts: PyArbitrateOptions)
    ensures
        eligible_entries(l.push(x), q, opts) == if eligible(x, q, opts) {
            eligible_entries(l, q, opts).push(x)
        } else {
            eligible_entries(l, q, opts)
        },
{
    assert(l.push(x).drop_last() =~= l);
    assert(l.push(x).last() == x);
}

/// One more ledger entry extends the decisions by its judgement exactly
/// when it is eligible.
pub proof fn lemma_arb_decisions_push<P: DecisionArbiter>(
    l: Seq<EntryV>,
    x: EntryV,
    q: QueryV,
    opts: PyArbitrateOptions,
    p: P,
)
    ensures
        arb_decisions(l.push(x), q, opts, p) == if eligible(x, q, opts) {
            arb_decisions(l, q, opts, p).push(decide_entry(x, p))
        } else {
            arb_decisions(l, q, opts, p)
        },
{
    lemma_eligible_push(l, x, q, opts);
    if eligible(x, q, opts) {
        assert(arb_decisions(l.push(x), q, opts, p) =~= arb_decisions(l, q, opts, p).push(
            decide_entry(x, p),
        ));
    }
}

} // verus!
