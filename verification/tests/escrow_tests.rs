use alkahest_py::attestation::{Attestation, LedgerEntry};
use alkahest_py::decision::{ExpectedStatement, TriState};
use alkahest_py::arbitrate::mark_arbitrated;
use alkahest_py::escrow::{arbitrate_past_for_escrow, EscrowError};
use alkahest_py::filter::{FilterError, FilterField, PyAttestationFilter};
use alkahest_py::params::{PyArbitrateOptions, PyEscrowParams, PyFulfillmentParams};
use alkahest_py::statements::{PyStringObligationStatementData, PyTrustedOracleArbiterDemandData};

fn statement_bytes(item: &str) -> Vec<u8> {
    PyStringObligationStatementData::new(item.to_string()).encode_self().unwrap()
}

fn demand_bytes(oracle: u8, data: Vec<u8>) -> Vec<u8> {
    PyTrustedOracleArbiterDemandData::new(format!("0x{}", format!("{:02x}", oracle).repeat(20)), data)
        .encode_self()
        .unwrap()
}

fn entry(uid: u8, schema: u8, block: u64, index: u64, data: Vec<u8>) -> LedgerEntry {
    LedgerEntry {
        attestation: Attestation {
            uid: vec![uid; 32],
            schema: vec![schema; 32],
            ref_uid: vec![0; 32],
            attester: vec![1; 20],
            recipient: vec![2; 20],
            time: 0,
            expiration_time: 0,
            revocation_time: 0,
            revocable: true,
            data,
        },
        block_number: block,
        log_index: index,
        tx_hash: vec![uid; 32],
        arbitrated: false,
    }
}

fn schema_filter(schema: u8) -> PyAttestationFilter {
    PyAttestationFilter::__new__(
        None,
        None,
        Some(format!("0x{}", format!("{:02x}", schema).repeat(32))),
        None,
        None,
        None,
        None,
    )
}

fn escrow_params(schema: u8) -> PyEscrowParams {
    PyEscrowParams::__new__(demand_bytes(0xee, vec![1]), schema_filter(schema))
}

fn fulfillment_params(schema: u8) -> PyFulfillmentParams {
    PyFulfillmentParams::__new__(
        PyStringObligationStatementData::new(String::new()),
        schema_filter(schema),
    )
}

// Schema 0xe0 holds escrows, schema 0xf0 holds fulfillments.
fn demo_ledger() -> Vec<LedgerEntry> {
    vec![
        entry(0x10, 0xe0, 1, 0, demand_bytes(0xaa, vec![1, 2])),
        entry(0x11, 0xe0, 1, 1, vec![9, 9, 9]), // demand does not decode
        entry(0x12, 0xe0, 2, 0, demand_bytes(0xbb, vec![3])),
        entry(0x20, 0xf0, 3, 0, statement_bytes("hello")),
        entry(0x21, 0xf0, 3, 1, statement_bytes("world")),
    ]
}

fn hello_predicate() -> ExpectedStatement {
    ExpectedStatement { expected: b"hello".to_vec() }
}

#[test]
fn each_fulfillment_is_paired_with_each_decodable_escrow() {
    let own = vec![0xaa_u8; 20];
    let r = arbitrate_past_for_escrow(
        &demo_ledger(),
        &escrow_params(0xe0),
        &fulfillment_params(0xf0),
        &hello_predicate(),
        &PyArbitrateOptions::default(),
        &own,
    )
    .unwrap();
    // Two decodable escrows, two decodable fulfillments: four pairings,
    // grouped by fulfillment in ledger order.
    assert_eq!(r.decisions.len(), 4);
    assert_eq!(r.escrow_attestations.len(), 2);
    assert_eq!(r.escrow_demands.len(), 2);
    assert_eq!(r.escrow_demands[0], format!("0x{}", "aa".repeat(20)));
    assert_eq!(r.escrow_demands[1], format!("0x{}", "bb".repeat(20)));
    assert_eq!(r.decisions[0].attestation.uid, format!("0x{}", "20".repeat(32)));
    assert_eq!(r.decisions[1].attestation.uid, format!("0x{}", "20".repeat(32)));
    assert_eq!(r.decisions[2].attestation.uid, format!("0x{}", "21".repeat(32)));
    assert_eq!(r.decisions[3].attestation.uid, format!("0x{}", "21".repeat(32)));
    assert_eq!(r.decisions[0].decision, TriState::Accepted);
    assert_eq!(r.decisions[2].decision, TriState::Rejected);
    assert_eq!(r.decisions[0].demand_data, Some(format!("0x{}", "aa".repeat(20))));
    assert_eq!(r.decisions[1].demand_data, Some(format!("0x{}", "bb".repeat(20))));
}

#[test]
fn foreign_oracle_escrow_is_excluded_not_rejected() {
    // The escrow demands name oracles 0xaa and 0xbb; our identity is 0x0c.
    let own = vec![0x0c_u8; 20];
    let opts = PyArbitrateOptions::__new__(true, false);
    let r = arbitrate_past_for_escrow(
        &demo_ledger(),
        &escrow_params(0xe0),
        &fulfillment_params(0xf0),
        &hello_predicate(),
        &opts,
        &own,
    )
    .unwrap();
    assert!(r.decisions.is_empty());
    assert!(r.escrow_attestations.is_empty());
}

#[test]
fn own_oracle_escrow_is_evaluated_under_require_oracle() {
    let own = vec![0xaa_u8; 20];
    let opts = PyArbitrateOptions::__new__(true, false);
    let r = arbitrate_past_for_escrow(
        &demo_ledger(),
        &escrow_params(0xe0),
        &fulfillment_params(0xf0),
        &hello_predicate(),
        &opts,
        &own,
    )
    .unwrap();
    // Only the 0xaa escrow survives; both fulfillments are judged against it.
    assert_eq!(r.escrow_attestations.len(), 1);
    assert_eq!(r.decisions.len(), 2);
    for d in &r.decisions {
        assert_eq!(d.demand_data, Some(format!("0x{}", "aa".repeat(20))));
    }
}

#[test]
fn undecodable_escrow_demand_excludes_only_that_escrow() {
    let own = vec![0xaa_u8; 20];
    let r = arbitrate_past_for_escrow(
        &demo_ledger(),
        &escrow_params(0xe0),
        &fulfillment_params(0xf0),
        &hello_predicate(),
        &PyArbitrateOptions::default(),
        &own,
    )
    .unwrap();
    // Entry 0x11's demand does not decode; the other two escrows remain.
    assert_eq!(r.escrow_attestations.len(), 2);
    assert_eq!(r.escrow_attestations[0].uid, format!("0x{}", "10".repeat(32)));
    assert_eq!(r.escrow_attestations[1].uid, format!("0x{}", "12".repeat(32)));
}

#[test]
fn malformed_caller_demand_is_fatal() {
    let own = vec![0xaa_u8; 20];
    let bad = PyEscrowParams::__new__(vec![1, 2, 3], schema_filter(0xe0));
    assert_eq!(
        arbitrate_past_for_escrow(
            &demo_ledger(),
            &bad,
            &fulfillment_params(0xf0),
            &hello_predicate(),
            &PyArbitrateOptions::default(),
            &own,
        ),
        Err(EscrowError::MalformedDemand)
    );
}

#[test]
fn escrow_filter_errors_come_first() {
    let own = vec![0xaa_u8; 20];
    let mut bad_filter = schema_filter(0xe0);
    bad_filter.attester = Some("xy".to_string());
    let bad_escrow = PyEscrowParams::__new__(vec![1, 2, 3], bad_filter);
    assert_eq!(
        arbitrate_past_for_escrow(
            &demo_ledger(),
            &bad_escrow,
            &fulfillment_params(0xf0),
            &hello_predicate(),
            &PyArbitrateOptions::default(),
            &own,
        ),
        Err(EscrowError::EscrowFilter(FilterError::MalformedField(FilterField::Attester)))
    );
}

#[test]
fn fulfillment_back_reference_is_ignored_in_escrow_matching() {
    // A ref_uid constraint in the fulfillment filter is validated but not
    // applied: matching is demand-based.
    let own = vec![0xaa_u8; 20];
    let mut f = schema_filter(0xf0);
    f.ref_uid = Some(format!("0x{}", "77".repeat(32)));
    let params = PyFulfillmentParams::__new__(PyStringObligationStatementData::new(String::new()), f);
    let r = arbitrate_past_for_escrow(
        &demo_ledger(),
        &escrow_params(0xe0),
        &params,
        &hello_predicate(),
        &PyArbitrateOptions::default(),
        &own,
    )
    .unwrap();
    // No fulfillment has ref_uid 0x77..., yet all are still judged.
    assert_eq!(r.decisions.len(), 4);
}

#[test]
fn skip_arbitrated_excludes_decided_fulfillments_in_escrow_runs() {
    let own = vec![0xaa_u8; 20];
    let ledger = demo_ledger();
    let first = arbitrate_past_for_escrow(
        &ledger,
        &escrow_params(0xe0),
        &fulfillment_params(0xf0),
        &hello_predicate(),
        &PyArbitrateOptions::default(),
        &own,
    )
    .unwrap();
    assert_eq!(first.decisions.len(), 4);
    let marked = mark_arbitrated(&ledger, &first.decisions);
    let opts = PyArbitrateOptions::__new__(false, true);
    let second = arbitrate_past_for_escrow(
        &marked,
        &escrow_params(0xe0),
        &fulfillment_params(0xf0),
        &hello_predicate(),
        &opts,
        &own,
    )
    .unwrap();
    // Both fulfillments were decided in the first run; none is judged again.
    assert!(second.decisions.is_empty());
    // The escrow set itself is unaffected by the idempotency guard.
    assert_eq!(second.escrow_attestations.len(), 2);
}
