//! Attestations and ledger entries as the engine sees them.
//!
//! An attestation is a signed, timestamped record with a schema-typed
//! payload; a ledger entry is an attestation at a position in the log
//! (block number, then log index within the block), together with the hash
//! of the transaction that carried it and the externally tracked
//! already-arbitrated flag the idempotency guard reads.

use vstd::prelude::*;

use crate::hex::{hex_str_of, hex_string_of};

verus! {

/// An observed attestation, byte-level.
#[derive(Clone, Debug, PartialEq, Eq)]
pub struct Attestation {
    pub uid: Vec<u8>,
    pub schema: Vec<u8>,
    pub ref_uid: Vec<u8>,
    pub attester: Vec<u8>,
    pub recipient: Vec<u8>,
    pub time: u64,
    pub expiration_time: u64,
    pub revocation_time: u64,
    pub revocable: bool,
    pub data: Vec<u8>,
}

/// Mathematical view of an attestation.
pub ghost struct AttV {
    pub uid: Seq<u8>,
    pub schema: Seq<u8>,
    pub ref_uid: Seq<u8>,
    pub attester: Seq<u8>,
    pub recipient: Seq<u8>,
    pub time: u64,
    pub expiration_time: u64,
    pub revocation_time: u64,
    pub revocable: bool,
    pub data: Seq<u8>,
}

impl View for Attestation {
    type V = AttV;

    open spec fn view(&self) -> AttV {
        AttV {
            uid: self.uid@,
            schema: self.schema@,
            ref_uid: self.ref_uid@,
            attester: self.attester@,
            recipient: self.recipient@,
            time: self.time,
            expiration_time: self.expiration_time,
            revocation_time: self.revocation_time,
            revocable: self.revocable,
            data: self.data@,
        }
    }
}

/// One matching log the ledger handed back: an attestation at its position,
/// with its transaction hash and the externally tracked arbitrated flag.
#[derive(Clone, Debug, PartialEq, Eq)]
pub struct LedgerEntry {
    pub attestation: Attestation,
    pub block_number: u64,
    pub log_index: u64,
    pub tx_hash: Vec<u8>,
    pub arbitrated: bool,
}

/// Mathematical view of a ledger entry.
pub ghost struct EntryV {
    pub attestation: AttV,
    pub block_number: u64,
    pub log_index: u64,
    pub tx_hash: Seq<u8>,
    pub arbitrated: bool,
}

impl View for LedgerEntry {
    type V = EntryV;

    open spec fn view(&self) -> EntryV {
        EntryV {
            attestation: self.attestation@,
            block_number: self.block_number,
            log_index: self.log_index,
            tx_hash: self.tx_hash@,
            arbitrated: self.arbitrated,
        }
    }
}

/// The view of a ledger as a sequence of entry views.
pub open spec fn ledger_view(l: Seq<LedgerEntry>) -> Seq<EntryV> {
    l.map_values(|e: LedgerEntry| e@)
}

/// Does position `(b1, i1)` come no later than `(b2, i2)` in log order?
pub open spec fn pos_le(b1: u64, i1: u64, b2: u64, i2: u64) -> bool {
    b1 < b2 || (b1 == b2 && i1 <= i2)
}

/// Log order: `(block_number, log_index)` is non-decreasing.
pub open spec fn ledger_sorted(l: Seq<EntryV>) -> bool {
    forall|i: int, j: int|
        0 <= i <= j < l.len() ==> pos_le(
            (#[trigger] l[i]).block_number,
            l[i].log_index,
            (#[trigger] l[j]).block_number,
            l[j].log_index,
        )
}

/// An attestation as handed back to a caller: identifiers and addresses as
/// `0x`-prefixed lower-case hex strings.
#[derive(Clone, Debug, PartialEq, Eq)]
pub struct PyOracleAttestation {
    pub uid: String,
    pub schema: String,
    pub ref_uid: String,
    pub time: u64,
    pub expiration_time: u64,
    pub revocation_time: u64,
    pub recipient: String,
    pub attester: String,
    pub revocable: bool,
    pub data: String,
}

/// Mathematical view of a caller-facing attestation.
pub ghost struct PyAttV {
    pub uid: Seq<char>,
    pub schema: Seq<char>,
    pub ref_uid: Seq<char>,
    pub time: u64,
    pub expiration_time: u64,
    pub revocation_time: u64,
    pub recipient: Seq<char>,
    pub attester: Seq<char>,
    pub revocable: bool,
    pub data: Seq<char>,
}

impl View for PyOracleAttestation {
    type V = PyAttV;

    open spec fn view(&self) -> PyAttV {
        PyAttV {
            uid: self.uid@,
            schema: self.schema@,
            ref_uid: self.ref_uid@,
            time: self.time,
            expiration_time: self.expiration_time,
            revocation_time: self.revocation_time,
            recipient: self.recipient@,
            attester: self.attester@,
            revocable: self.revocable,
            data: self.data@,
        }
    }
}

/// The caller-facing rendering of a byte-level attestation.
pub open spec fn py_att_of(a: AttV) -> PyAttV {
    PyAttV {
        uid: hex_str_of(a.uid),
        schema: hex_str_of(a.schema),
        ref_uid: hex_str_of(a.ref_uid),
        time: a.time,
        expiration_time: a.expiration_time,
        revocation_time: a.revocation_time,
        recipient: hex_str_of(a.recipient),
        attester: hex_str_of(a.attester),
        revocable: a.revocable,
        data: hex_str_of(a.data),
    }
}

impl PyOracleAttestation {
    /// Build a caller-facing attestation from its parts.
    pub fn __new__(
        uid: String,
        schema: String,
        ref_uid: String,
        time: u64,
        expiration_time: u64,
        revocation_time: u64,
        recipient: String,
        attester: String,
        revocable: bool,
        data: String,
    ) -> (r: Self)
        ensures
            r@ == (PyAttV {
                uid: uid@,
                schema: schema@,
                ref_uid: ref_uid@,
                time,
                expiration_time,
                revocation_time,
                recipient: recipient@,
                attester: attester@,
                revocable,
                data: data@,
            }),
    {
        PyOracleAttestation {
            uid,
            schema,
            ref_uid,
            time,
            expiration_time,
            revocation_time,
            recipient,
            attester,
            revocable,
            data,
        }
    }

    /// Render a byte-level attestation for the caller.
    pub fn from_attestation(a: &Attestation) -> (r: Self)
        ensures
            r@ == py_att_of(a@),
    {
        PyOracleAttestation {
            uid: hex_string_of(&a.uid),
            schema: hex_string_of(&a.schema),
            ref_uid: hex_string_of(&a.ref_uid),
            time: a.time,
            expiration_time: a.expiration_time,
            revocation_time: a.revocation_time,
            recipient: hex_string_of(&a.recipient),
            attester: hex_string_of(&a.attester),
            revocable: a.revocable,
            data: hex_string_of(&a.data),
        }
    }
}

} // verus!
