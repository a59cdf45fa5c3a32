//! Oracle arbitration engine: declarative filtering of attestation logs,
//! tri-state evaluation of a pluggable decision predicate, escrow/fulfillment
//! pairing over decoded demand data, and bounded/unbounded evaluation loops.
//!
//! Ledger I/O (log queries, event subscriptions, transaction receipts) and
//! cross-runtime predicate dispatch are external collaborators: the engine
//! here is pure, and a driver hands it ledger entries and predicate replies.

pub mod abi;
pub mod arbitrate;
pub mod attestation;
pub mod decision;
pub mod escrow;
pub mod filter;
pub mod hex;
pub mod listen;
pub mod params;
pub mod results;
pub mod statements;
