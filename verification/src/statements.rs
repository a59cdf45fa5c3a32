//! Caller-facing obligation statement and demand types, with their codecs.
//!
//! These are the values callers construct and decode: the string obligation
//! statement, the trusted-oracle demand payload, and the token obligation
//! statements.  Addresses arrive as hex strings and are validated when a
//! value is encoded.

use vstd::prelude::*;
use vstd::string::StrSliceExecFns;
use vstd::utf8::encode_utf8;

use crate::abi::{
    abi_pad_len, decode_demand, demand_dec, demand_dec_ok, demand_enc, encode_demand,
    encode_erc20_escrow, encode_erc20_payment, encode_statement, erc20_escrow_enc,
    erc20_payment_enc, statement_enc,
};
use crate::hex::{hex_bytes_of, hex_str_of, hex_string_of, is_hex_str, parse_hex_fixed};

verus! {

/// Why a payload could not be encoded or decoded.
#[derive(Clone, Copy, Debug, PartialEq, Eq, Structural)]
pub enum PayloadError {
    /// An address field is not hex of 20 bytes.
    MalformedAddress,
    /// The encoding would not fit in memory.
    TooLarge,
    /// The bytes are not a canonical encoding of the expected shape.
    MalformedPayload,
}

/// The statement payload of a string obligation.
#[derive(Clone, Debug, PartialEq, Eq)]
pub struct PyStringObligationStatementData {
    pub item: String,
}

impl PyStringObligationStatementData {
    /// Build a statement payload from its item.
    pub fn new(item: String) -> (r: Self)
        ensures
            r.item@ == item@,
    {
        PyStringObligationStatementData { item }
    }

    /// Encode the statement for the wire: the item's UTF-8 bytes as a
    /// dynamic byte string behind two offset words.
    pub fn encode_self(&self) -> (r: Result<Vec<u8>, PayloadError>)
        ensures
            match r {
                Ok(v) => 96 + encode_utf8(self.item@).len() + abi_pad_len(
                    encode_utf8(self.item@).len(),
                ) <= usize::MAX && v@ == statement_enc(encode_utf8(self.item@)),
                Err(e) => e == PayloadError::TooLarge && 96 + encode_utf8(self.item@).len()
                    + abi_pad_len(encode_utf8(self.item@).len()) > usize::MAX,
            },
    {
        let bytes = self.item.as_str().as_bytes_vec();
        let pad = (32 - bytes.len() % 32) % 32;
        if (96u128 + bytes.len() as u128 + pad as u128) > usize::MAX as u128 {
            return Err(PayloadError::TooLarge);
        }
        assert(pad as nat == abi_pad_len(bytes@.len()));
        Ok(encode_statement(&bytes))
    }
}

/// A decoded string obligation attestation, as handed back to a caller.
pub struct PyDecodedStringStatement {
    pub uid: String,
    pub attester: String,
    pub recipient: String,
    pub ref_uid: String,
    pub time: u64,
    pub expiration_time: u64,
    pub revocable: bool,
    pub data: PyStringObligationStatementData,
}

/// The demand payload of a trusted-oracle arbiter: the oracle it names as a
/// hex string, and its opaque criteria bytes.
#[derive(Clone, Debug, PartialEq, Eq)]
pub struct PyTrustedOracleArbiterDemandData {
    pub oracle: String,
    pub data: Vec<u8>,
}

impl PyTrustedOracleArbiterDemandData {
    /// Build a demand payload from its parts.
    pub fn new(oracle: String, data: Vec<u8>) -> (r: Self)
        ensures
            r.oracle@ == oracle@,
            r.data@ == data@,
    {
        PyTrustedOracleArbiterDemandData { oracle, data }
    }

    /// Encode the demand for the wire; fails when the oracle is not a
    /// 20-byte hex address or the encoding would not fit in memory.
    pub fn encode_self(&self) -> (r: Result<Vec<u8>, PayloadError>)
        ensures
            match r {
                Ok(v) => is_hex_str(self.oracle@, 20) && 128 + self.data@.len() + abi_pad_len(
                    self.data@.len(),
                ) <= usize::MAX && v@ == demand_enc(hex_bytes_of(self.oracle@), self.data@),
                Err(PayloadError::MalformedAddress) => !is_hex_str(self.oracle@, 20),
                Err(PayloadError::TooLarge) => is_hex_str(self.oracle@, 20) && 128
                    + self.data@.len() + abi_pad_len(self.data@.len()) > usize::MAX,
                Err(PayloadError::MalformedPayload) => false,
            },
    {
        let oracle = match parse_hex_fixed(self.oracle.as_str(), 20) {
            Some(o) => o,
            None => {
                return Err(PayloadError::MalformedAddress);
            },
        };
        let pad = (32 - self.data.len() % 32) % 32;
        if (128u128 + self.data.len() as u128 + pad as u128) > usize::MAX as u128 {
            return Err(PayloadError::TooLarge);
        }
        assert(pad as nat == abi_pad_len(self.data@.len()));
        Ok(encode_demand(&oracle, &self.data))
    }

    /// Decode a demand payload; succeeds exactly on canonical encodings.
    pub fn decode(demand_bytes: Vec<u8>) -> (r: Result<Self, PayloadError>)
        ensures
            match r {
                Ok(d) => demand_dec_ok(demand_bytes@) && d.oracle@ == hex_str_of(
                    demand_dec(demand_bytes@).0,
                ) && d.data@ == demand_dec(demand_bytes@).1,
                Err(e) => e == PayloadError::MalformedPayload && !demand_dec_ok(demand_bytes@),
            },
    {
        match decode_demand(&demand_bytes) {
            Some((oracle, data)) => Ok(
                PyTrustedOracleArbiterDemandData { oracle: hex_string_of(&oracle), data },
            ),
            None => Err(PayloadError::MalformedPayload),
        }
    }
}

/// An ERC20 escrow obligation statement.
#[derive(Clone, Debug, PartialEq, Eq)]
pub struct PyERC20EscrowObligationStatement {
    pub token: String,
    pub amount: u64,
    pub arbiter: String,
    pub demand: Vec<u8>,
}

impl PyERC20EscrowObligationStatement {
    /// Build an ERC20 escrow statement from its parts.
    pub fn new(token: String, amount: u64, arbiter: String, demand: Vec<u8>) -> (r: Self)
        ensures
            r.token@ == token@,
            r.amount == amount,
            r.arbiter@ == arbiter@,
            r.demand@ == demand@,
    {
        PyERC20EscrowObligationStatement { token, amount, arbiter, demand }
    }

    /// Encode the statement for the wire; fails when an address is not a
    /// 20-byte hex address or the encoding would not fit in memory.
    pub fn encode_self(&self) -> (r: Result<Vec<u8>, PayloadError>)
        ensures
            match r {
                Ok(v) => is_hex_str(self.token@, 20) && is_hex_str(self.arbiter@, 20) && 192
                    + self.demand@.len() + abi_pad_len(self.demand@.len()) <= usize::MAX && v@
                    == erc20_escrow_enc(
                    hex_bytes_of(self.token@),
                    self.amount,
                    hex_bytes_of(self.arbiter@),
                    self.demand@,
                ),
                Err(PayloadError::MalformedAddress) => !is_hex_str(self.token@, 20) || !is_hex_str(
                    self.arbiter@,
                    20,
                ),
                Err(PayloadError::TooLarge) => is_hex_str(self.token@, 20) && is_hex_str(
                    self.arbiter@,
                    20,
                ) && 192 + self.demand@.len() + abi_pad_len(self.demand@.len()) > usize::MAX,
                Err(PayloadError::MalformedPayload) => false,
            },
    {
        let token = match parse_hex_fixed(self.token.as_str(), 20) {
            Some(o) => o,
            None => {
                return Err(PayloadError::MalformedAddress);
            },
        };
        let arbiter = match parse_hex_fixed(self.arbiter.as_str(), 20) {
            Some(o) => o,
            None => {
                return Err(PayloadError::MalformedAddress);
            },
        };
        let pad = (32 - self.demand.len() % 32) % 32;
        if (192u128 + self.demand.len() as u128 + pad as u128) > usize::MAX as u128 {
            return Err(PayloadError::TooLarge);
        }
        assert(pad as nat == abi_pad_len(self.demand@.len()));
        Ok(encode_erc20_escrow(&token, self.amount, &arbiter, &self.demand))
    }
}

/// An ERC20 payment obligation statement.
#[derive(Clone, Debug, PartialEq, Eq)]
pub struct PyERC20PaymentObligationStatement {
    pub token: String,
    pub amount: u64,
    pub payee: String,
}

impl PyERC20PaymentObligationStatement {
    /// Build an ERC20 payment statement from its parts.
    pub fn new(token: String, amount: u64, payee: String) -> (r: Self)
        ensures
            r.token@ == token@,
            r.amount == amount,
            r.payee@ == payee@,
    {
        PyERC20PaymentObligationStatement { token, amount, payee }
    }

    /// Encode the statement for the wire; fails when an address is not a
    /// 20-byte hex address.
    pub fn encode_self(&self) -> (r: Result<Vec<u8>, PayloadError>)
        ensures
            match r {
                Ok(v) => is_hex_str(self.token@, 20) && is_hex_str(self.payee@, 20) && v@
                    == erc20_payment_enc(
                    hex_bytes_of(self.token@),
                    self.amount,
                    hex_bytes_of(self.payee@),
                ),
                Err(e) => e == PayloadError::MalformedAddress && (!is_hex_str(self.token@, 20)
                    || !is_hex_str(self.payee@, 20)),
            },
    {
        let token = match parse_hex_fixed(self.token.as_str(), 20) {
            Some(o) => o,
            None => {
                return Err(PayloadError::MalformedAddress);
            },
        };
        let payee = match parse_hex_fixed(self.payee.as_str(), 20) {
            Some(o) => o,
            None => {
                return Err(PayloadError::MalformedAddress);
            },
        };
        Ok(encode_erc20_payment(&token, self.amount, &payee))
    }
}

/// An ERC721 escrow obligation statement.
#[derive(Clone, Debug, PartialEq, Eq)]
pub struct PyERC721EscrowObligationStatement {
    pub token: String,
    pub token_id: String,
    pub arbiter: String,
    pub demand: Vec<u8>,
}

impl PyERC721EscrowObligationStatement {
    /// Build an ERC721 escrow statement from its parts.
    pub fn new(token: String, token_id: String, arbiter: String, demand: Vec<u8>) -> (r: Self)
        ensures
            r.token@ == token@,
            r.token_id@ == token_id@,
            r.arbiter@ == arbiter@,
            r.demand@ == demand@,
    {
        PyERC721EscrowObligationStatement { token, token_id, arbiter, demand }
    }
}

/// An ERC721 payment obligation statement.
#[derive(Clone, Debug, PartialEq, Eq)]
pub struct PyERC721PaymentObligationStatement {
    pub token: String,
    pub token_id: String,
    pub payee: String,
}

impl PyERC721PaymentObligationStatement {
    /// Build an ERC721 payment statement from its parts.
    pub fn new(token: String, token_id: String, payee: String) -> (r: Self)
        ensures
            r.token@ == token@,
            r.token_id@ == token_id@,
            r.payee@ == payee@,
    {
        PyERC721PaymentObligationStatement { token, token_id, payee }
    }
}

/// An ERC1155 escrow obligation statement.
#[derive(Clone, Debug, PartialEq, Eq)]
pub struct PyERC1155EscrowObligationStatement {
    pub token: String,
    pub token_id: String,
    pub amount: String,
    pub arbiter: String,
    pub demand: Vec<u8>,
}

impl PyERC1155EscrowObligationStatement {
    /// Build an ERC1155 escrow statement from its parts.
    pub fn new(token: String, token_id: String, amount: String, arbiter: String, demand: Vec<
        u8,
    >) -> (r: Self)
        ensures
            r.token@ == token@,
            r.token_id@ == token_id@,
            r.amount@ == amount@,
            r.arbiter@ == arbiter@,
            r.demand@ == demand@,
    {
        PyERC1155EscrowObligationStatement { token, token_id, amount, arbiter, demand }
    }
}

/// An ERC1155 payment obligation statement.
#[derive(Clone, Debug, PartialEq, Eq)]
pub struct PyERC1155PaymentObligationStatement {
    pub token: String,
    pub token_id: String,
    pub amount: String,
    pub payee: String,
}

impl PyERC1155PaymentObligationStatement {
    /// Build an ERC1155 payment statement from its parts.
    pub fn new(token: String, token_id: String, amount: String, payee: String) -> (r: Self)
        ensures
            r.token@ == token@,
            r.token_id@ == token_id@,
            r.amount@ == amount@,
            r.payee@ == payee@,
    {
        PyERC1155PaymentObligationStatement { token, token_id, amount, payee }
    }
}

} // verus!
