use alkahest_py::arbitrate::{arbitrate_past, mark_arbitrated};
use alkahest_py::attestation::{Attestation, LedgerEntry};
use alkahest_py::decision::{ConstReply, ExpectedStatement, PredicateReply, TriState, classify_reply};
use alkahest_py::filter::{FilterError, PyAttestationFilter};
use alkahest_py::params::{PyArbitrateOptions, PyFulfillmentParams};
use alkahest_py::statements::PyStringObligationStatementData;

fn statement_bytes(item: &str) -> Vec<u8> {
    PyStringObligationStatementData::new(item.to_string()).encode_self().unwrap()
}

fn entry(uid: u8, schema: u8, block: u64, index: u64, data: Vec<u8>) -> LedgerEntry {
    LedgerEntry {
        attestation: Attestation {
            uid: vec![uid; 32],
            schema: vec![schema; 32],
            ref_uid: vec![0; 32],
            attester: vec![1; 20],
            recipient: vec![2; 20],
            time: 1000 + block,
            expiration_time: 0,
            revocation_time: 0,
            revocable: true,
            data,
        },
        block_number: block,
        log_index: index,
        tx_hash: vec![uid; 32],
        arbitrated: false,
    }
}

fn schema_filter(schema: u8) -> PyAttestationFilter {
    PyAttestationFilter::__new__(
        None,
        None,
        Some(format!("0x{}", format!("{:02x}", schema).repeat(32))),
        None,
        None,
        None,
        None,
    )
}

fn params(schema: u8) -> PyFulfillmentParams {
    PyFulfillmentParams::__new__(
        PyStringObligationStatementData::new(String::new()),
        schema_filter(schema),
    )
}

fn demo_ledger() -> Vec<LedgerEntry> {
    vec![
        entry(0x01, 0xaa, 1, 0, statement_bytes("hello")),
        entry(0x02, 0xaa, 1, 1, statement_bytes("world")),
        entry(0x03, 0xbb, 2, 0, statement_bytes("hello")), // other schema
        entry(0x04, 0xaa, 2, 1, vec![1, 2, 3]),            // undecodable payload
        entry(0x05, 0xaa, 3, 0, statement_bytes("hello")),
    ]
}

fn hello_predicate() -> ExpectedStatement {
    ExpectedStatement { expected: b"hello".to_vec() }
}

#[test]
fn matching_statement_is_accepted() {
    let ledger = vec![entry(0x01, 0xaa, 1, 0, statement_bytes("hello"))];
    let r = arbitrate_past(&ledger, &params(0xaa), &hello_predicate(), &PyArbitrateOptions::default())
        .unwrap();
    assert_eq!(r.total_count, 1);
    assert_eq!(r.successful_count, 1);
    assert_eq!(r.decisions[0].decision, TriState::Accepted);
    assert_eq!(r.decisions[0].statement_data, Some(b"hello".to_vec()));
}

#[test]
fn mismatching_statement_is_rejected() {
    let ledger = vec![entry(0x01, 0xaa, 1, 0, statement_bytes("hello"))];
    let world = ExpectedStatement { expected: b"world".to_vec() };
    let r = arbitrate_past(&ledger, &params(0xaa), &world, &PyArbitrateOptions::default()).unwrap();
    assert_eq!(r.total_count, 1);
    assert_eq!(r.successful_count, 0);
    assert_eq!(r.decisions[0].decision, TriState::Rejected);
}

#[test]
fn filtering_counting_and_exclusion_of_undecodable_payloads() {
    let r = arbitrate_past(
        &demo_ledger(),
        &params(0xaa),
        &hello_predicate(),
        &PyArbitrateOptions::default(),
    )
    .unwrap();
    // Schema 0xbb and the undecodable entry are excluded; three remain.
    assert_eq!(r.total_count, 3);
    assert_eq!(r.successful_count, 2);
    assert_eq!(r.decisions[0].decision, TriState::Accepted);
    assert_eq!(r.decisions[1].decision, TriState::Rejected);
    assert_eq!(r.decisions[2].decision, TriState::Accepted);
}

#[test]
fn decisions_keep_ledger_log_order() {
    let r = arbitrate_past(
        &demo_ledger(),
        &params(0xaa),
        &hello_predicate(),
        &PyArbitrateOptions::default(),
    )
    .unwrap();
    let uids: Vec<String> = r.decisions.iter().map(|d| d.attestation.uid.clone()).collect();
    assert_eq!(
        uids,
        vec![
            format!("0x{}", "01".repeat(32)),
            format!("0x{}", "02".repeat(32)),
            format!("0x{}", "05".repeat(32)),
        ]
    );
}

#[test]
fn block_range_narrows_the_run() {
    let mut f = schema_filter(0xaa);
    f.from_block = Some(2);
    f.to_block = Some(3);
    let p = PyFulfillmentParams::__new__(PyStringObligationStatementData::new(String::new()), f);
    let r = arbitrate_past(&demo_ledger(), &p, &hello_predicate(), &PyArbitrateOptions::default())
        .unwrap();
    assert_eq!(r.total_count, 1);
    assert_eq!(r.decisions[0].attestation.uid, format!("0x{}", "05".repeat(32)));
}

#[test]
fn invalid_filter_fails_before_any_evaluation() {
    let mut f = schema_filter(0xaa);
    f.from_block = Some(5);
    f.to_block = Some(1);
    let p = PyFulfillmentParams::__new__(PyStringObligationStatementData::new(String::new()), f);
    assert_eq!(
        arbitrate_past(&demo_ledger(), &p, &hello_predicate(), &PyArbitrateOptions::default()),
        Err(FilterError::InvalidBlockRange)
    );
}

#[test]
fn repeated_runs_over_unchanged_ledger_are_identical() {
    let ledger = demo_ledger();
    let p = params(0xaa);
    let opts = PyArbitrateOptions::default();
    let r1 = arbitrate_past(&ledger, &p, &hello_predicate(), &opts).unwrap();
    let r2 = arbitrate_past(&ledger, &p, &hello_predicate(), &opts).unwrap();
    assert_eq!(r1, r2);
}

#[test]
fn skip_arbitrated_excludes_previously_decided_attestations() {
    let ledger = demo_ledger();
    let p = params(0xaa);
    let first = arbitrate_past(&ledger, &p, &hello_predicate(), &PyArbitrateOptions::default())
        .unwrap();
    assert_eq!(first.total_count, 3);
    let marked = mark_arbitrated(&ledger, &first.decisions);
    let opts = PyArbitrateOptions::__new__(false, true);
    let second = arbitrate_past(&marked, &p, &hello_predicate(), &opts).unwrap();
    assert_eq!(second.total_count, 0);
    assert!(second.decisions.is_empty());
}

#[test]
fn skip_arbitrated_still_judges_new_attestations() {
    let mut ledger = demo_ledger();
    let p = params(0xaa);
    let first = arbitrate_past(&ledger, &p, &hello_predicate(), &PyArbitrateOptions::default())
        .unwrap();
    let mut marked = mark_arbitrated(&ledger, &first.decisions);
    marked.push(entry(0x06, 0xaa, 4, 0, statement_bytes("hello")));
    ledger.push(entry(0x06, 0xaa, 4, 0, statement_bytes("hello")));
    let opts = PyArbitrateOptions::__new__(false, true);
    let second = arbitrate_past(&marked, &p, &hello_predicate(), &opts).unwrap();
    assert_eq!(second.total_count, 1);
    assert_eq!(second.decisions[0].attestation.uid, format!("0x{}", "06".repeat(32)));
}

#[test]
fn tri_state_distinguishes_indeterminate_from_rejected() {
    let ledger = vec![entry(0x01, 0xaa, 1, 0, statement_bytes("hello"))];
    let unsure = ConstReply { reply: PredicateReply::Uncoercible };
    let r = arbitrate_past(&ledger, &params(0xaa), &unsure, &PyArbitrateOptions::default()).unwrap();
    assert_eq!(r.decisions[0].decision, TriState::Indeterminate);
    assert_eq!(r.successful_count, 0);
    let no = ConstReply { reply: PredicateReply::Boolean(false) };
    let r2 = arbitrate_past(&ledger, &params(0xaa), &no, &PyArbitrateOptions::default()).unwrap();
    assert_eq!(r2.decisions[0].decision, TriState::Rejected);
    assert_ne!(r.decisions[0].decision, r2.decisions[0].decision);
}

#[test]
fn every_predicate_outcome_maps_to_its_tri_state() {
    assert_eq!(classify_reply(PredicateReply::Boolean(true)), TriState::Accepted);
    assert_eq!(classify_reply(PredicateReply::Boolean(false)), TriState::Rejected);
    assert_eq!(classify_reply(PredicateReply::Coercible(true)), TriState::Accepted);
    assert_eq!(classify_reply(PredicateReply::Coercible(false)), TriState::Rejected);
    assert_eq!(classify_reply(PredicateReply::Uncoercible), TriState::Indeterminate);
    assert_eq!(classify_reply(PredicateReply::Raised), TriState::Indeterminate);
}

#[test]
fn raising_predicate_yields_indeterminate_and_the_run_continues() {
    let ledger = demo_ledger();
    let raiser = ConstReply { reply: PredicateReply::Raised };
    let r = arbitrate_past(&ledger, &params(0xaa), &raiser, &PyArbitrateOptions::default()).unwrap();
    assert_eq!(r.total_count, 3);
    assert_eq!(r.successful_count, 0);
    for d in &r.decisions {
        assert_eq!(d.decision, TriState::Indeterminate);
    }
}

#[test]
fn decision_carries_transaction_hash_and_rendered_attestation() {
    let ledger = vec![entry(0x07, 0xaa, 1, 0, statement_bytes("hello"))];
    let r = arbitrate_past(&ledger, &params(0xaa), &hello_predicate(), &PyArbitrateOptions::default())
        .unwrap();
    let d = &r.decisions[0];
    assert_eq!(d.transaction_hash, format!("0x{}", "07".repeat(32)));
    assert_eq!(d.attestation.schema, format!("0x{}", "aa".repeat(32)));
    assert_eq!(d.attestation.attester, format!("0x{}", "01".repeat(20)));
    assert_eq!(d.attestation.time, 1001);
    assert!(d.demand_data.is_none());
}
