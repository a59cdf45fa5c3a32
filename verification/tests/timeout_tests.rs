use std::time::{Duration, Instant};

use alkahest_py::decision::ExpectedStatement;
use alkahest_py::attestation::LedgerEntry;
use alkahest_py::filter::PyAttestationFilter;
use alkahest_py::listen::{ListenSession, StopReason};
use alkahest_py::params::{PyArbitrateOptions, PyFulfillmentParams};
use alkahest_py::statements::PyStringObligationStatementData;

fn params() -> PyFulfillmentParams {
    PyFulfillmentParams::__new__(
        PyStringObligationStatementData::new(String::new()),
        PyAttestationFilter::__new__(
            None,
            None,
            Some(format!("0x{}", "aa".repeat(32))),
            None,
            None,
            None,
            None,
        ),
    )
}

#[test]
fn listen_with_no_matching_events_returns_at_the_timeout_empty_and_without_error() {
    let runtime = tokio::runtime::Runtime::new().unwrap();
    let started = Instant::now();
    let result = runtime.block_on(async {
        let predicate = ExpectedStatement { expected: b"hello".to_vec() };
        let mut session = ListenSession::begin(&params(), &PyArbitrateOptions::default()).unwrap();
        let (_tx, mut events) = tokio::sync::mpsc::channel::<LedgerEntry>(4);
        let deadline = Instant::now() + Duration::from_secs(1);
        loop {
            let remaining = deadline.saturating_duration_since(Instant::now());
            match tokio::time::timeout(remaining, events.recv()).await {
                Ok(Some(entry)) => {
                    session.on_entry(&entry, &predicate);
                }
                Ok(None) => {
                    session.interrupt(StopReason::Cancelled);
                    break;
                }
                Err(_) => {
                    session.interrupt(StopReason::TimedOut);
                    break;
                }
            }
        }
        session.finish()
    });
    let elapsed = started.elapsed();
    assert!(elapsed >= Duration::from_millis(900));
    assert!(elapsed < Duration::from_secs(10));
    assert!(result.decisions.is_empty());
    assert_eq!(result.successful_count, 0);
    assert_eq!(result.total_count, 0);
}
