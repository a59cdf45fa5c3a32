use alkahest_py::attestation::{Attestation, LedgerEntry};
use alkahest_py::decision::{ExpectedStatement, TriState};
use alkahest_py::listen::{EscrowListenSession, ListenPhase, ListenSession, StopReason};
use alkahest_py::filter::PyAttestationFilter;
use alkahest_py::params::{
    PyArbitrateOptions, PyEscrowParams, PyFulfillmentParams, PyFulfillmentParamsWithoutRefUid,
};
use alkahest_py::statements::{PyStringObligationStatementData, PyTrustedOracleArbiterDemandData};

fn statement_bytes(item: &str) -> Vec<u8> {
    PyStringObligationStatementData::new(item.to_string()).encode_self().unwrap()
}

fn demand_bytes(oracle: u8) -> Vec<u8> {
    PyTrustedOracleArbiterDemandData::new(format!("0x{}", format!("{:02x}", oracle).repeat(20)), vec![])
        .encode_self()
        .unwrap()
}

fn entry(uid: u8, schema: u8, block: u64, index: u64, data: Vec<u8>) -> LedgerEntry {
    LedgerEntry {
        attestation: Attestation {
            uid: vec![uid; 32],
            schema: vec![schema; 32],
            ref_uid: vec![0; 32],
            attester: vec![1; 20],
            recipient: vec![2; 20],
            time: 0,
            expiration_time: 0,
            revocation_time: 0,
            revocable: true,
            data,
        },
        block_number: block,
        log_index: index,
        tx_hash: vec![uid; 32],
        arbitrated: false,
    }
}

fn schema_filter(schema: u8) -> PyAttestationFilter {
    PyAttestationFilter::__new__(
        None,
        None,
        Some(format!("0x{}", format!("{:02x}", schema).repeat(32))),
        None,
        None,
        None,
        None,
    )
}

fn params(schema: u8) -> PyFulfillmentParams {
    PyFulfillmentParams::__new__(
        PyStringObligationStatementData::new(String::new()),
        schema_filter(schema),
    )
}

fn hello_predicate() -> ExpectedStatement {
    ExpectedStatement { expected: b"hello".to_vec() }
}

#[test]
fn timeout_with_no_events_ends_gracefully_and_empty() {
    let mut s = ListenSession::begin(&params(0xaa), &PyArbitrateOptions::default()).unwrap();
    assert_eq!(s.phase, ListenPhase::Listening);
    s.interrupt(StopReason::TimedOut);
    assert_eq!(s.phase, ListenPhase::Stopped);
    assert_eq!(s.stop_reason, Some(StopReason::TimedOut));
    let r = s.finish();
    assert!(r.decisions.is_empty());
    assert_eq!(r.successful_count, 0);
    assert_eq!(r.total_count, 0);
}

#[test]
fn each_matching_event_yields_one_decision() {
    let mut s = ListenSession::begin(&params(0xaa), &PyArbitrateOptions::default()).unwrap();
    let p = hello_predicate();
    let d1 = s.on_entry(&entry(0x01, 0xaa, 1, 0, statement_bytes("hello")), &p);
    assert_eq!(d1.unwrap().decision, TriState::Accepted);
    // A non-matching schema is ignored.
    let d2 = s.on_entry(&entry(0x02, 0xbb, 1, 1, statement_bytes("hello")), &p);
    assert!(d2.is_none());
    // An undecodable payload is excluded, not fatal.
    let d3 = s.on_entry(&entry(0x03, 0xaa, 1, 2, vec![5, 5]), &p);
    assert!(d3.is_none());
    let d4 = s.on_entry(&entry(0x04, 0xaa, 2, 0, statement_bytes("world")), &p);
    assert_eq!(d4.unwrap().decision, TriState::Rejected);
    s.interrupt(StopReason::Cancelled);
    let r = s.finish();
    assert_eq!(r.total_count, 2);
    assert_eq!(r.successful_count, 1);
}

#[test]
fn entries_after_a_stop_are_ignored() {
    let mut s = ListenSession::begin(&params(0xaa), &PyArbitrateOptions::default()).unwrap();
    let p = hello_predicate();
    s.interrupt(StopReason::LedgerFault);
    let d = s.on_entry(&entry(0x01, 0xaa, 1, 0, statement_bytes("hello")), &p);
    assert!(d.is_none());
    assert_eq!(s.finish().total_count, 0);
}

#[test]
fn backlog_is_drained_before_listening() {
    let backlog = vec![
        entry(0x01, 0xaa, 1, 0, statement_bytes("hello")),
        entry(0x02, 0xaa, 1, 1, statement_bytes("world")),
    ];
    let p = hello_predicate();
    let mut s = ListenSession::begin_with_backlog(
        &backlog,
        &params(0xaa),
        &p,
        &PyArbitrateOptions::default(),
    )
    .unwrap();
    let d = s.on_entry(&entry(0x03, 0xaa, 2, 0, statement_bytes("hello")), &p);
    assert!(d.is_some());
    s.interrupt(StopReason::TimedOut);
    let r = s.finish();
    assert_eq!(r.total_count, 3);
    assert_eq!(r.successful_count, 2);
}

#[test]
fn escrow_session_judges_new_fulfillments_against_the_escrow_set() {
    let backlog = vec![
        entry(0x10, 0xe0, 1, 0, demand_bytes(0xaa)),
        entry(0x11, 0xe0, 1, 1, demand_bytes(0xbb)),
    ];
    let escrow = PyEscrowParams::__new__(demand_bytes(0xee), schema_filter(0xe0));
    let fulfillment = PyFulfillmentParamsWithoutRefUid::__new__(
        PyStringObligationStatementData::new(String::new()),
        schema_filter(0xf0),
    );
    let p = hello_predicate();
    let own = vec![0xaa_u8; 20];
    let mut s = EscrowListenSession::begin_for_escrow(
        &backlog,
        &escrow,
        &fulfillment,
        &p,
        &PyArbitrateOptions::default(),
        &own,
        false,
    )
    .unwrap();
    assert!(s.decisions.is_empty());
    let ds = s.on_fulfillment(&entry(0x20, 0xf0, 2, 0, statement_bytes("hello")), &p);
    assert_eq!(ds.len(), 2);
    assert_eq!(ds[0].decision, TriState::Accepted);
    assert_eq!(ds[0].demand_data, Some(format!("0x{}", "aa".repeat(20))));
    assert_eq!(ds[1].demand_data, Some(format!("0x{}", "bb".repeat(20))));
    s.interrupt(StopReason::TimedOut);
    let r = s.finish();
    assert_eq!(r.decisions.len(), 2);
    assert_eq!(r.escrow_attestations.len(), 2);
}

#[test]
fn escrow_session_can_drain_the_fulfillment_backlog() {
    let backlog = vec![
        entry(0x10, 0xe0, 1, 0, demand_bytes(0xaa)),
        entry(0x20, 0xf0, 2, 0, statement_bytes("hello")),
    ];
    let escrow = PyEscrowParams::__new__(demand_bytes(0xee), schema_filter(0xe0));
    let fulfillment = PyFulfillmentParamsWithoutRefUid::__new__(
        PyStringObligationStatementData::new(String::new()),
        schema_filter(0xf0),
    );
    let p = hello_predicate();
    let own = vec![0xaa_u8; 20];
    let mut s = EscrowListenSession::begin_for_escrow(
        &backlog,
        &escrow,
        &fulfillment,
        &p,
        &PyArbitrateOptions::default(),
        &own,
        true,
    )
    .unwrap();
    assert_eq!(s.decisions.len(), 1);
    s.interrupt(StopReason::Cancelled);
    assert_eq!(s.finish().decisions.len(), 1);
}
